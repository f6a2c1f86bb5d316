use ray_tracer::gpu_buffers::{
    mesh_buffer_size, should_resize, size_after_write, tetrahedron_index_buffer_size,
    tetrahedron_triangle_buffer_size, BufferTuple,
};

#[test]
fn buffer_grows_only_when_the_data_does_not_fit() {
    assert!(!should_resize(16, 0));
    assert!(!should_resize(16, 16));
    assert!(should_resize(16, 17));
    assert!(should_resize(0, 1));
    assert!(!should_resize(0, 0));
    assert!(!should_resize(u64::MAX, u64::MAX));
}

#[test]
fn buffer_never_shrinks() {
    assert_eq!(size_after_write(16, 4), 16);
    assert_eq!(size_after_write(16, 16), 16);
    assert_eq!(size_after_write(16, 64), 64);
    assert_eq!(size_after_write(0, u64::MAX), u64::MAX);
}

#[test]
fn mesh_buffers_have_room_for_at_least_one_item() {
    assert_eq!(tetrahedron_triangle_buffer_size(0, 16), Some(64));
    assert_eq!(tetrahedron_triangle_buffer_size(1, 16), Some(64));
    assert_eq!(tetrahedron_triangle_buffer_size(3, 16), Some(192));
    assert_eq!(tetrahedron_index_buffer_size(0, 4), Some(24));
    assert_eq!(tetrahedron_index_buffer_size(1, 4), Some(24));
    assert_eq!(tetrahedron_index_buffer_size(10, 4), Some(240));
    assert_eq!(mesh_buffer_size(7, 3, 5), Some(105));
    assert_eq!(mesh_buffer_size(7, 0, 5), Some(0));
    assert_eq!(mesh_buffer_size(7, 3, 0), Some(0));
}

#[test]
fn mesh_buffer_size_that_does_not_fit_is_refused() {
    assert_eq!(tetrahedron_triangle_buffer_size(2, u64::MAX), None);
    assert_eq!(tetrahedron_triangle_buffer_size(1, u64::MAX / 4), Some(u64::MAX / 4 * 4));
    assert_eq!(tetrahedron_triangle_buffer_size(1, u64::MAX / 4 + 1), None);
    assert_eq!(tetrahedron_index_buffer_size(1, u64::MAX / 6 + 1), None);
    assert_eq!(mesh_buffer_size(2, u64::MAX, 0), Some(0));
    assert_eq!(mesh_buffer_size(1, u64::MAX, 1), Some(u64::MAX));
}

#[test]
fn group_is_bound_again_when_any_buffer_was_recreated() {
    assert!(!().any_recreated());
    assert!(!(false,).any_recreated());
    assert!((true,).any_recreated());
    assert!(!(false, false).any_recreated());
    assert!((false, true).any_recreated());
    assert!((true, false, false).any_recreated());
    assert!(!(false, false, false).any_recreated());
    assert!((false, false, false, true).any_recreated());
    assert!(!(false, false, false, false, false).any_recreated());
    assert!((false, false, false, false, false, true).any_recreated());
    assert!((false, false, false, true, false, false, false).any_recreated());
    assert!(!(false, false, false, false, false, false, false, false).any_recreated());
    assert!((false, false, false, false, false, false, false, true).any_recreated());
}
