use gradient_web::servers::{
    activation_response, check_new_server, connected, delete_server, delete_server_active,
    deleted_response, get_server, patch_server, patched_response, post_server_active,
    post_server_check_connection, put,
    MakeServerRequest, PatchChecks, PatchServerRequest, ServerFailure, ServerRow,
};

fn text(s: &str) -> String {
    s.to_string()
}

fn server(managed: bool) -> ServerRow {
    ServerRow {
        id: 1,
        name: text("builder"),
        display_name: text("Builder"),
        organization: 2,
        active: true,
        host: text("host"),
        port: 22,
        username: text("nix"),
        last_connection_at: 0,
        created_by: 3,
        created_at: 4,
        managed,
    }
}

fn found(managed: bool) -> Result<Option<ServerRow>, String> {
    Ok(Some(server(managed)))
}

fn nothing() -> PatchServerRequest {
    PatchServerRequest {
        name: None,
        display_name: None,
        host: None,
        port: None,
        username: None,
        architectures: None,
        features: None,
    }
}

fn checks() -> PatchChecks {
    PatchChecks {
        name_valid: true,
        name_taken: Ok(false),
        display_name_error: None,
        parsed: vec![Some(1), None, Some(2)],
    }
}

fn failure(status: u16, message: &str) -> ServerFailure {
    ServerFailure { status, message: text(message) }
}

#[test]
fn servers_are_found() {
    assert_eq!(get_server(found(false)), Ok(server(false)));
    assert_eq!(get_server(Ok(None)), Err(failure(404, "Server not found")));
    assert_eq!(get_server(Err(text("down"))), Err(failure(500, "Database error: down")));
}

#[test]
fn servers_are_created() {
    let body = MakeServerRequest {
        name: text("builder"),
        display_name: text("Builder"),
        host: text("host"),
        port: 22,
        username: text("nix"),
        architectures: vec![text("x86_64-linux"), text("vax")],
        features: vec![],
    };
    let make = |valid, error: Option<String>, organization, taken, parsed: Vec<Option<i16>>| {
        put(&body, valid, &error, organization, taken, &parsed, 1, 3, 0, 4)
    };
    let (row, architectures) = make(true, None, Some(2), false, vec![Some(1), None]).unwrap();
    assert_eq!(row, server(false));
    assert_eq!(architectures, vec![1]);
    assert_eq!(make(true, None, None, false, vec![Some(1)]).unwrap_err().status(), 404);
    assert_eq!(make(true, None, Some(2), true, vec![Some(1)]).unwrap_err().status(), 409);
    let nameless = make(false, None, None, true, vec![]).unwrap_err();
    assert_eq!((nameless.status(), nameless.public_message()), (400, text("Invalid Server Name")));
    assert_eq!(make(true, Some(text("x")), None, true, vec![]).unwrap_err().status(), 400);
    let none = make(true, None, Some(2), false, vec![None]).unwrap_err();
    assert_eq!((none.status(), none.public_message()), (400, text("Invalid Architectures")));
    assert_eq!(check_new_server(false, &None).unwrap_err().public_message(), "Invalid Server Name");
    assert!(check_new_server(true, &Some(text("x"))).is_err());
}

#[test]
fn empty_change_keeps_the_server() {
    let change = patch_server(found(false), nothing(), checks()).unwrap();
    assert_eq!(change.server, server(false));
    assert_eq!(change.architectures, None);
    assert_eq!(change.features, None);
}

#[test]
fn changes_are_written() {
    let body = PatchServerRequest {
        name: Some(text("new")),
        display_name: Some(text("New")),
        host: Some(text("other")),
        port: Some(2222),
        username: Some(text("root")),
        architectures: Some(vec![text("a"), text("b"), text("c")]),
        features: Some(vec![text("kvm")]),
    };
    let change = patch_server(found(false), body, checks()).unwrap();
    assert_eq!(change.server.name, "new");
    assert_eq!(change.server.port, 2222);
    assert_eq!(change.server.organization, 2);
    assert_eq!(change.architectures, Some(vec![1, 2]));
    assert_eq!(change.features, Some(vec![text("kvm")]));
    assert_eq!(patched_response(Ok(()), Ok(())), Ok("Server updated"));
    assert_eq!(
        patched_response(Err(text("x")), Ok(())),
        Err(failure(500, "Failed to insert server architectures: x"))
    );
    assert_eq!(
        patched_response(Ok(()), Err(text("x"))),
        Err(failure(500, "Failed to update server: x"))
    );
}

#[test]
fn changes_are_refused() {
    assert_eq!(
        patch_server(found(true), nothing(), checks()),
        Err(failure(403, "Cannot modify state-managed server. This server is managed by configuration and cannot be edited through the API."))
    );
    let named = || PatchServerRequest { name: Some(text("new")), ..nothing() };
    let refused = |body, c| patch_server(found(false), body, c).unwrap_err();
    assert_eq!(
        refused(named(), PatchChecks { name_valid: false, ..checks() }),
        failure(400, "Invalid Server Name")
    );
    assert_eq!(
        refused(named(), PatchChecks { name_taken: Ok(true), ..checks() }),
        failure(409, "Server Name already exists")
    );
    assert_eq!(
        refused(named(), PatchChecks { name_taken: Err(text("down")), ..checks() }),
        failure(500, "Database error: down")
    );
    assert_eq!(
        refused(
            PatchServerRequest { display_name: Some(text("x")), ..nothing() },
            PatchChecks { display_name_error: Some(text("long")), ..checks() }
        ),
        failure(400, "Invalid display name: long")
    );
    assert_eq!(
        refused(
            PatchServerRequest { architectures: Some(vec![text("vax")]), ..nothing() },
            PatchChecks { parsed: vec![None], ..checks() }
        ),
        failure(400, "Invalid Architectures")
    );
}

#[test]
fn servers_are_deleted_and_switched() {
    assert!(delete_server(found(false)).is_ok());
    assert_eq!(delete_server(found(true)).unwrap_err().status, 403);
    assert_eq!(deleted_response(Ok(())), Ok("Server deleted"));
    assert_eq!(deleted_response(Err(text("x"))), Err(failure(500, "Failed to delete server: x")));
    assert!(!delete_server_active(found(false)).unwrap().active);
    assert!(post_server_active(found(false)).unwrap().active);
    assert_eq!(delete_server_active(found(true)).unwrap_err().status, 403);
    assert_eq!(post_server_active(Ok(None)).unwrap_err().status, 404);
    assert_eq!(activation_response(Ok(()), true), Ok("Server enabled"));
    assert_eq!(
        activation_response(Err(text("x")), false),
        Err(failure(500, "Failed to disable server: x"))
    );
}

#[test]
fn connections_are_tested() {
    assert_eq!(
        post_server_check_connection(found(true), Ok(()), Ok(())),
        Ok("server connection established")
    );
    assert_eq!(
        post_server_check_connection(found(true), Err(text("k")), Ok(())),
        Err(failure(500, "Failed to decrypt SSH private key: k"))
    );
    assert_eq!(
        post_server_check_connection(found(true), Ok(()), Err(text("c"))),
        Err(failure(504, "server connection failed with error: c"))
    );
    assert_eq!(connected(server(false), 99).last_connection_at, 99);
}
