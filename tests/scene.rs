use raytracer::scene::{first_hit_index, SceneList};

#[test]
fn next_and_prev_wrap_at_both_ends() {
    let mut list = SceneList::new(vec!["a", "b", "c"]);
    assert_eq!(list.current_scene_index(), 0);
    list.prev();
    assert_eq!(list.current_scene_index(), 2);
    assert_eq!(*list.current_immut(), "c");
    list.next();
    assert_eq!(list.current_scene_index(), 0);
    list.next();
    list.next();
    assert_eq!(*list.current_immut(), "c");
    list.next();
    assert_eq!(*list.current_immut(), "a");
}

#[test]
fn current_is_changed_in_place() {
    let mut list = SceneList::new(vec![1, 2, 3]);
    list.next();
    *list.current() += 40;
    assert_eq!(*list.current_immut(), 42);
    *list.scene_mut(2) = 9;
    list.next();
    assert_eq!(*list.current_immut(), 9);
    assert_eq!(list.len(), 3);
}

#[test]
fn single_scene_stays_current() {
    let mut list = SceneList::new(vec!['x']);
    list.next();
    assert_eq!(list.current_scene_index(), 0);
    list.prev();
    assert_eq!(list.current_scene_index(), 0);
}

#[test]
fn pointed_at_object_is_first_hit() {
    assert_eq!(first_hit_index(&vec![false, true, true]), Some(1));
    assert_eq!(first_hit_index(&vec![true, false]), Some(0));
    assert_eq!(first_hit_index(&vec![false, false]), None);
    assert_eq!(first_hit_index(&vec![]), None);
}
