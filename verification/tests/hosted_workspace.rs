use loc_cli::hosted_state::{
    before_publication, revalidate_pending_transition, validate_receipt_metadata_against_pending,
    HostedWorkspaceMountMapping, HostedWorkspaceTransitionKind, PendingHostedWorkspaceTransition,
    PreparedHostedWorkspaceTransition, PublicationMetadata,
};
use loc_cli::hosted_workspace::HostedWorkspaceIdentity;
use loc_cli::paths::PathStyle;

const DIGEST: &str = "sha256:6d739ad2748910520e4df1d680e9ea78a94230d0751e6346d3f5d3c57b9259b5";
const PROFILE: &str = "018f4f6e-9f2c-7b1a-8c3d-4e5f60718293";

fn identity() -> HostedWorkspaceIdentity {
    HostedWorkspaceIdentity {
        api_origin: "https://api.example.com".to_string(),
        profile_id: PROFILE.to_string(),
    }
}

fn pending(
    transition_id: &str,
    revision: u64,
    digest: &str,
    root: &str,
    kind: HostedWorkspaceTransitionKind,
) -> PendingHostedWorkspaceTransition {
    PendingHostedWorkspaceTransition {
        prepared: PreparedHostedWorkspaceTransition {
            transition_id: transition_id.to_string(),
            identity: identity(),
            credential_ref: "hosted-workspace:test".to_string(),
            target_root: root.to_string(),
            profile_revision: revision,
            layout_version: 1,
            layout_digest: digest.to_string(),
            mappings: vec![HostedWorkspaceMountMapping {
                portable_mount_id: "portable".to_string(),
                local_mount_id: "local".to_string(),
                mount_target: "docs".to_string(),
                profile_revision: revision,
                active: true,
            }],
            prepared_at: "2026-08-03T00:00:00Z".to_string(),
        },
        kind,
    }
}

#[test]
fn receipt_metadata_must_match_the_exact_pending_attachment() {
    let metadata = PublicationMetadata {
        profile_id: PROFILE.to_string(),
        profile_revision: 7,
        layout_version: 1,
        layout_digest: DIGEST.to_string(),
    };
    let root = "/tmp/locality-receipt-binding-test";
    let matching = pending("matching", 7, DIGEST, root, HostedWorkspaceTransitionKind::Attach);
    validate_receipt_metadata_against_pending(&metadata, &matching).expect("receipt matches");

    let mismatched = pending("mismatched", 8, DIGEST, root, HostedWorkspaceTransitionKind::Attach);
    let error = validate_receipt_metadata_against_pending(&metadata, &mismatched)
        .expect_err("receipt of another revision");
    assert_eq!(error.code(), "hosted_workspace_recovery_required");
}

#[test]
fn prepublication_revalidation_rejects_replaced_pending_payload() {
    let root = "/tmp/pending-revalidation/Workspace";
    let expected = pending("expected", 7, DIGEST, root, HostedWorkspaceTransitionKind::Attach);
    let replacement = pending(
        "replacement",
        8,
        "sha256:bbbbbbbbbbbbbbbbbbbbbbbbbbbbbbbbbbbbbbbbbbbbbbbbbbbbbbbbbbbbbbbb",
        root,
        HostedWorkspaceTransitionKind::Attach,
    );

    let error = revalidate_pending_transition(PathStyle::Unix, Some(&replacement), &expected)
        .expect_err("replaced transition");
    assert_eq!(error.code(), "hosted_workspace_recovery_required");
    revalidate_pending_transition(
        PathStyle::Unix,
        Some(&expected),
        &expected,
    ).expect("same transition");
}

#[test]
fn relocation_prepublication_revalidation_rejects_raced_destination_creation() {
    let relocate = pending(
        "relocate",
        8,
        "sha256:bbbbbbbbbbbbbbbbbbbbbbbbbbbbbbbbbbbbbbbbbbbbbbbbbbbbbbbbbbbbbbbb",
        "/tmp/relocation-race/NewWorkspace",
        HostedWorkspaceTransitionKind::Relocate,
    );

    let error = before_publication(PathStyle::Unix, Ok(()), Some(&relocate), &relocate, true)
        .expect_err("raced destination must block relocation publication");
    assert!(error.contains("no longer absent"));
    before_publication(
        PathStyle::Unix,
        Ok(()),
        Some(&relocate),
        &relocate,
        false,
    ).expect("destination is absent");
}
