use loc_cli::connect::{
    run_connect_granola, ConnectError, ConnectOptions, GranolaConnectionProbe,
};

#[derive(Debug)]
struct SuccessfulGranolaProbe;

impl GranolaConnectionProbe for SuccessfulGranolaProbe {
    fn probe(&self, api_key: &str) -> Result<(), ConnectError> {
        assert_eq!(api_key, "grn_test_secret");
        Ok(())
    }
}

#[test]
fn granola_connect_stores_secret_outside_connection_metadata() {
    let plan = run_connect_granola(
        &Ok(Vec::new()),
        ConnectOptions {
            connection_id: Some("granola-work".to_string()),
            token: "grn_test_secret".to_string(),
        },
        &SuccessfulGranolaProbe,
        Ok("{}".to_string()),
        "unix:1",
    )
    .expect("connect Granola");

    assert_eq!(plan.secret_ref, "connection:granola-work");
    assert_eq!(plan.secret, "grn_test_secret");
    let (connection, report) = plan.connection.expect("connection");
    assert_eq!(report.connector, "granola");
    assert_eq!(report.auth_kind, "api_key");
    assert_eq!(connection.connection_id, "granola-work");
    assert_eq!(connection.secret_ref, "connection:granola-work");
    assert!(!format!("{connection:?}").contains("grn_test_secret"));
}
