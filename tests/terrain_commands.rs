use scene_anim::terrain::{
    AddTerrainLayerCommand, Chunk, DeleteTerrainLayerCommand, ModifyTerrainHeightCommand,
    ModifyTerrainLayerMaskCommand, Terrain,
};

fn chunk(heights: Vec<f32>, masks: Vec<Vec<u8>>) -> Chunk<f32> {
    Chunk { heightmap: heights, layer_masks: masks }
}

fn two_chunk_terrain() -> Terrain<f32, String> {
    Terrain {
        layers: vec!["grass".to_string()],
        chunks: vec![
            chunk(vec![1.0, 2.0], vec![vec![1, 2, 3, 4]]),
            chunk(vec![3.0, 4.0], vec![vec![5, 6, 7, 8]]),
        ],
        mask_size: 4,
    }
}

fn heights(t: &Terrain<f32, String>) -> Vec<Vec<f32>> {
    t.chunks.iter().map(|c| c.heightmap.clone()).collect()
}

fn masks(t: &Terrain<f32, String>) -> Vec<Vec<Vec<u8>>> {
    t.chunks.iter().map(|c| c.layer_masks.clone()).collect()
}

#[test]
fn modify_height_round_trip() {
    let mut t = two_chunk_terrain();
    let mut cmd = ModifyTerrainHeightCommand::new(
        vec![vec![1.0, 2.0], vec![3.0, 4.0]],
        vec![vec![9.0, 9.0], vec![8.0, 8.0]],
    );
    cmd.execute(&mut t);
    assert_eq!(heights(&t), vec![vec![9.0, 9.0], vec![8.0, 8.0]]);
    cmd.revert(&mut t);
    assert_eq!(heights(&t), vec![vec![1.0, 2.0], vec![3.0, 4.0]]);
    cmd.execute(&mut t);
    assert_eq!(heights(&t), vec![vec![9.0, 9.0], vec![8.0, 8.0]]);
    assert_eq!(masks(&t), masks(&two_chunk_terrain()));
    assert_eq!(cmd.name(), "Modify Terrain Height");
}

#[test]
fn modify_height_swap_trades_buffers() {
    let mut t = two_chunk_terrain();
    let mut cmd = ModifyTerrainHeightCommand::new(
        vec![vec![1.0, 2.0], vec![3.0, 4.0]],
        vec![vec![5.0, 5.0], vec![6.0, 6.0]],
    );
    cmd.swap(&mut t);
    assert_eq!(heights(&t), vec![vec![5.0, 5.0], vec![6.0, 6.0]]);
    assert_eq!(cmd.old_heightmaps, vec![vec![5.0, 5.0], vec![6.0, 6.0]]);
    assert_eq!(cmd.new_heightmaps, vec![vec![1.0, 2.0], vec![3.0, 4.0]]);
}

#[test]
fn add_delete_revert_round_trip() {
    let initial = two_chunk_terrain();
    let mut t = two_chunk_terrain();
    let mut add = AddTerrainLayerCommand::new("rock".to_string());
    add.execute(&mut t);
    assert_eq!(t.layers, vec!["grass".to_string(), "rock".to_string()]);
    assert_eq!(masks(&t), vec![vec![vec![1, 2, 3, 4], vec![0; 4]], vec![vec![5, 6, 7, 8], vec![0; 4]]]);
    let mut delete = DeleteTerrainLayerCommand::new(1);
    delete.execute(&mut t);
    assert_eq!(t.layers, initial.layers);
    assert_eq!(delete.layer, Some("rock".to_string()));
    delete.revert(&mut t);
    assert_eq!(t.layers, vec!["grass".to_string(), "rock".to_string()]);
    add.revert(&mut t);
    assert_eq!(t.layers, initial.layers);
    assert_eq!(masks(&t), masks(&initial));
    assert_eq!(heights(&t), heights(&initial));
    assert_eq!(add.layer, Some("rock".to_string()));
    assert_eq!(add.masks, vec![vec![0; 4], vec![0; 4]]);
}

#[test]
fn delete_layer_keeps_masks_for_undo() {
    let mut t = two_chunk_terrain();
    let mut delete = DeleteTerrainLayerCommand::new(0);
    delete.execute(&mut t);
    assert!(t.layers.is_empty());
    assert_eq!(masks(&t), vec![Vec::<Vec<u8>>::new(), Vec::new()]);
    assert_eq!(delete.masks, vec![vec![1, 2, 3, 4], vec![5, 6, 7, 8]]);
    delete.revert(&mut t);
    assert_eq!(masks(&t), masks(&two_chunk_terrain()));
    assert_eq!(delete.name(), "Delete Terrain Layer");
}

#[test]
fn add_layer_reexecutes_with_kept_masks() {
    let mut t = two_chunk_terrain();
    let mut add = AddTerrainLayerCommand::new("sand".to_string());
    add.execute(&mut t);
    t.chunks[0].layer_masks[1][0] = 42;
    add.revert(&mut t);
    add.execute(&mut t);
    assert_eq!(t.chunks[0].layer_masks[1], vec![42, 0, 0, 0]);
    assert_eq!(add.name(), "Add Terrain Layer");
}

#[test]
fn insert_and_pop_layers() {
    let mut t = two_chunk_terrain();
    t.insert_layer("base".to_string(), vec![vec![9; 4]], 0);
    assert_eq!(t.layers, vec!["base".to_string(), "grass".to_string()]);
    assert_eq!(t.chunks[0].layer_masks[0], vec![9; 4]);
    assert_eq!(t.chunks[1].layer_masks[0], vec![0; 4]);
    let (layer, removed) = t.pop_layer().unwrap();
    assert_eq!(layer, "grass");
    assert_eq!(removed, vec![vec![1, 2, 3, 4], vec![5, 6, 7, 8]]);
    t.pop_layer();
    assert!(t.pop_layer().is_none());
}

#[test]
fn modify_layer_mask_round_trip() {
    let mut t = two_chunk_terrain();
    let mut cmd = ModifyTerrainLayerMaskCommand::new(
        vec![vec![1, 2, 3, 4], vec![5, 6, 7, 8]],
        vec![vec![0, 0, 0, 0], vec![255, 255]],
        0,
    );
    cmd.execute(&mut t);
    assert_eq!(masks(&t), vec![vec![vec![0, 0, 0, 0]], vec![vec![255, 255, 7, 8]]]);
    cmd.revert(&mut t);
    assert_eq!(masks(&t), masks(&two_chunk_terrain()));
    assert_eq!(cmd.name(), "Modify Terrain Layer Mask");
}
