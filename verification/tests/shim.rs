use nacl_rust_min::shim::did_change_focus;
use nacl_rust_min::shim::did_change_view;
use nacl_rust_min::shim::did_create;
use nacl_rust_min::shim::did_destroy;
use nacl_rust_min::shim::get_interface;
use nacl_rust_min::shim::handle_document_load;
use nacl_rust_min::shim::initialize_module;
use nacl_rust_min::shim::instance_interface_name_bytes;
use nacl_rust_min::shim::shutdown_module;
use nacl_rust_min::shim::PP_FALSE;
use nacl_rust_min::shim::PP_OK;
use nacl_rust_min::shim::PP_TRUE;
use nacl_rust_min::table::CallbackRef;
use nacl_rust_min::table::Capability;
use nacl_rust_min::table::InstanceInterfaceTable;

#[test]
fn recognized_name_bytes() {
    assert_eq!(instance_interface_name_bytes(), b"PPP_Instance;1.1\0".to_vec());
}

#[test]
fn get_interface_serves_instance_table_for_exact_name() {
    let (call_line, reply_line, capability) = get_interface(b"PPP_Instance;1.1\0");
    assert_eq!(call_line, "[call] get interface");
    assert_eq!(reply_line, "PPP_Instance;1.1");
    match capability {
        Capability::InstanceCapability(table) => {
            assert_eq!(table.did_create, CallbackRef::DidCreate);
            assert_eq!(table.did_destroy, CallbackRef::DidDestroy);
            assert_eq!(table.did_change_view, CallbackRef::DidChangeView);
            assert_eq!(table.did_change_focus, CallbackRef::DidChangeFocus);
            assert_eq!(table.handle_document_load, CallbackRef::HandleDocumentLoad);
        }
        Capability::NoCapability => panic!("instance capability must be served"),
    }
}

#[test]
fn get_interface_rejects_every_other_name() {
    let rejected: [&[u8]; 7] = [
        b"",
        b"\0",
        b"PPP_Instance;1.0\0",
        b"PPP_Instance;1.2\0",
        b"PPP_Instance;1.1",
        b"PPP_Instance;1.1\0x",
        b"QPP_Instance;1.1\0",
    ];
    for name in rejected {
        let (call_line, reply_line, capability) = get_interface(name);
        assert_eq!(call_line, "[call] get interface");
        assert_eq!(reply_line, "PPP_Unknown;0.0");
        assert_eq!(capability, Capability::NoCapability);
    }
}

#[test]
fn get_interface_scenario() {
    let (_, _, hit) = get_interface(b"PPP_Instance;1.1\0");
    assert_eq!(hit, Capability::InstanceCapability(InstanceInterfaceTable::new()));
    let (_, _, near_miss) = get_interface(b"PPP_Instance;1.0\0");
    assert_eq!(near_miss, Capability::NoCapability);
    let (_, _, empty) = get_interface(b"");
    assert_eq!(empty, Capability::NoCapability);
}

#[test]
fn initialize_module_always_succeeds() {
    assert_eq!(initialize_module(0, 0), ("[call] initialize module", PP_OK));
    assert_eq!(initialize_module(i32::MAX, i32::MIN), ("[call] initialize module", PP_OK));
    assert_eq!(initialize_module(i32::MIN, i32::MAX), ("[call] initialize module", PP_OK));
    assert_eq!(initialize_module(-1, 7), ("[call] initialize module", PP_OK));
}

#[test]
fn shutdown_module_is_idempotent() {
    let first = shutdown_module();
    let second = shutdown_module();
    let third = shutdown_module();
    assert_eq!(first, "[call] shutdown module");
    assert_eq!(second, first);
    assert_eq!(third, first);
}

#[test]
fn did_create_always_accepts() {
    assert_eq!(did_create(0, 0, 0, 0), ("[call] did create", PP_TRUE));
    assert_eq!(did_create(i32::MIN, u32::MAX, usize::MAX, 1), ("[call] did create", PP_TRUE));
}

#[test]
fn did_destroy_only_reports() {
    assert_eq!(did_destroy(0), "[call] did destroy");
    assert_eq!(did_destroy(i32::MAX), "[call] did destroy");
}

#[test]
fn did_change_view_only_reports() {
    assert_eq!(did_change_view(0, 0), "[call] did change view");
    assert_eq!(did_change_view(-5, i32::MIN), "[call] did change view");
}

#[test]
fn did_change_focus_only_reports() {
    assert_eq!(did_change_focus(0, 1), "[call] did change focus");
    assert_eq!(did_change_focus(i32::MAX, 0), "[call] did change focus");
}

#[test]
fn handle_document_load_never_handles() {
    assert_eq!(handle_document_load(0, 0), ("[call] handle document load", PP_FALSE));
    assert_eq!(handle_document_load(1, i32::MAX), ("[call] handle document load", PP_FALSE));
}

#[test]
fn status_constants_match_host_vocabulary() {
    assert_eq!(PP_OK, 0);
    assert_eq!(PP_TRUE, 1);
    assert_eq!(PP_FALSE, 0);
}
