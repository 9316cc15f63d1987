use gpu_scene::utils::{choose_surface_format, frame_error, SurfaceError};

#[test]
fn lost_is_reported_as_outdated() {
    assert!(matches!(frame_error(SurfaceError::Lost), SurfaceError::Outdated));
    assert!(matches!(frame_error(SurfaceError::Outdated), SurfaceError::Outdated));
}

#[test]
fn other_errors_are_reported_as_they_are() {
    assert!(matches!(frame_error(SurfaceError::Timeout), SurfaceError::Timeout));
    assert!(matches!(frame_error(SurfaceError::Occluded), SurfaceError::Occluded));
    assert!(matches!(frame_error(SurfaceError::Validation), SurfaceError::Validation));
}

#[test]
fn first_linear_format_is_chosen() {
    assert_eq!(choose_surface_format(&[true, false, false]), 1);
    assert_eq!(choose_surface_format(&[false, true]), 0);
    assert_eq!(choose_surface_format(&[true, true]), 0);
    assert_eq!(choose_surface_format(&[true]), 0);
}
