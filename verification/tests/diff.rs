use loc_cli::diff::DiffError;
use loc_cli::model::{LocalityError, LocalityErrorKind};

#[test]
fn update_required_has_stable_diff_error_code() {
    let error = DiffError::Prepare(LocalityError {
        kind: LocalityErrorKind::UpdateRequired,
        message: "linear:discovery needs an update: found 2, supported 1".to_string(),
    });

    assert_eq!(error.code(), "update_required");
}
