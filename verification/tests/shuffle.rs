use bilibili_music::audio::shuffle::{ItemsChanged, ShuffleListModel};

fn numbers(n: u32) -> Vec<u32> {
    (0..n).map(|i| i * 10).collect()
}

#[test]
fn unshuffled_overlay_passes_the_base_through() {
    let overlay = ShuffleListModel::new(Some(numbers(5)));
    assert!(!overlay.shuffled());
    assert_eq!(overlay.n_items(), 5);
    for i in 0..5 {
        assert_eq!(overlay.item(i), Some(&(i * 10)));
        assert_eq!(overlay.base_index(i), Some(i));
    }
    assert_eq!(overlay.item(5), None);
    assert_eq!(overlay.base_index(5), None);
    assert_eq!(overlay.item(u32::MAX), None);
}

#[test]
fn overlay_without_model_is_empty() {
    let mut overlay: ShuffleListModel<u32> = ShuffleListModel::default();
    assert_eq!(overlay.n_items(), 0);
    assert_eq!(overlay.item(0), None);
    assert_eq!(overlay.unshuffle(), None);
    assert_eq!(overlay.reshuffle(), None);
    assert!(!overlay.shuffled());
    let unbound: ShuffleListModel<u32> = ShuffleListModel::new(None);
    assert_eq!(unbound.n_items(), 0);
}

#[test]
fn reshuffle_draws_a_permutation() {
    let mut overlay = ShuffleListModel::new(Some(numbers(40)));
    let change = overlay.reshuffle();
    assert_eq!(change, Some(ItemsChanged { position: 0, removed: 40, added: 40 }));
    assert!(overlay.shuffled());
    assert_eq!(overlay.n_items(), 40);
    let mut positions = overlay.shuffle.clone().unwrap();
    assert_eq!(positions.len(), 40);
    positions.sort();
    assert_eq!(positions, (0..40).collect::<Vec<u32>>());
    let mut items: Vec<u32> = (0..40).map(|i| *overlay.item(i).unwrap()).collect();
    items.sort();
    assert_eq!(items, numbers(40));
    assert_eq!(overlay.item(40), None);
}

#[test]
fn reshuffle_changes_the_order() {
    let mut overlay = ShuffleListModel::new(Some(numbers(64)));
    overlay.reshuffle();
    let identity: Vec<u32> = (0..64).collect();
    assert_ne!(overlay.shuffle.clone().unwrap(), identity);
}

#[test]
fn shuffled_item_goes_through_the_permutation() {
    let mut overlay = ShuffleListModel::new(Some(numbers(10)));
    overlay.reshuffle();
    let positions = overlay.shuffle.clone().unwrap();
    for i in 0..10u32 {
        assert_eq!(overlay.base_index(i), Some(positions[i as usize]));
        assert_eq!(overlay.item(i), Some(&(positions[i as usize] * 10)));
    }
}

#[test]
fn unshuffle_restores_the_base_order() {
    let mut overlay = ShuffleListModel::new(Some(numbers(20)));
    overlay.reshuffle();
    let change = overlay.unshuffle();
    assert_eq!(change, Some(ItemsChanged { position: 0, removed: 20, added: 20 }));
    assert!(!overlay.shuffled());
    for i in 0..20 {
        assert_eq!(overlay.item(i), Some(&(i * 10)));
    }
}

#[test]
fn reshuffle_of_an_empty_collection() {
    let mut overlay = ShuffleListModel::new(Some(Vec::<u32>::new()));
    assert_eq!(overlay.reshuffle(), Some(ItemsChanged { position: 0, removed: 0, added: 0 }));
    assert!(overlay.shuffled());
    assert_eq!(overlay.n_items(), 0);
    assert_eq!(overlay.item(0), None);
}

#[test]
fn changes_pass_unmodified_when_unshuffled() {
    let overlay = ShuffleListModel::new(Some(numbers(3)));
    assert_eq!(
        overlay.items_changed(2, 1, 0),
        Some(ItemsChanged { position: 2, removed: 1, added: 0 })
    );
    assert_eq!(
        overlay.items_changed(9, 0, 1),
        Some(ItemsChanged { position: 9, removed: 0, added: 1 })
    );
}

#[test]
fn changes_go_through_the_permutation_when_shuffled() {
    let mut overlay = ShuffleListModel::new(Some(numbers(8)));
    overlay.reshuffle();
    let positions = overlay.shuffle.clone().unwrap();
    assert_eq!(
        overlay.items_changed(3, 1, 2),
        Some(ItemsChanged { position: positions[3], removed: 1, added: 2 })
    );
    assert_eq!(overlay.items_changed(8, 0, 1), None);
}

#[test]
fn set_model_binds_another_collection() {
    let mut overlay = ShuffleListModel::new(Some(numbers(3)));
    overlay.set_model(Some(numbers(5)));
    assert_eq!(overlay.n_items(), 5);
    assert_eq!(overlay.item(4), Some(&40));
    overlay.set_model(None);
    assert_eq!(overlay.n_items(), 0);
    assert_eq!(overlay.item(0), None);
}
