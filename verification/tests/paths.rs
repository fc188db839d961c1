use named_shm::paths::{mutex_backing_path, value_backing_path};

#[test]
fn mutex_path_carries_suffix() {
    assert_eq!(mutex_backing_path("ctr"), "/dev/shm/ctr.mtx");
}

#[test]
fn value_path_is_bare_name() {
    assert_eq!(value_backing_path("ctr_val"), "/dev/shm/ctr_val");
}

#[test]
fn same_name_backs_both_without_collision() {
    assert_ne!(mutex_backing_path("ctr"), value_backing_path("ctr"));
}
