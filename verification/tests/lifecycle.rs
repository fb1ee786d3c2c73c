use wrapped_mono::domain::Domain;
use wrapped_mono::error::{CallError, MarshalError};
use wrapped_mono::handle::{Assembly, DomainToken};
use wrapped_mono::jit;
use wrapped_mono::jit::Runtime;

#[test]
fn a_domain_handle_is_never_null_but_present() {
    let token = DomainToken { index: 0 };
    assert!(Domain::from_ptr(0, token).is_none());
    let d = Domain::from_ptr(0x1000, token).unwrap();
    assert_eq!(d.get_ptr(), 0x1000);
    assert_eq!(d.token_exec(), token);
}

#[test]
fn fresh_runtime_can_init_only() {
    let rt = Runtime::new();
    assert!(rt.can_init());
    assert!(!rt.is_running());
}

#[test]
fn init_request_marshals_name_and_version() {
    let rt = Runtime::new();
    let call = jit::init_request(&rt, "root", None).unwrap();
    assert_eq!(call.name, b"root\0".to_vec());
    assert!(call.version.is_none());

    let call = jit::init_request(&rt, "root", Some("v4.0.30319")).unwrap();
    assert_eq!(call.name, b"root\0".to_vec());
    assert_eq!(call.version.unwrap(), b"v4.0.30319\0".to_vec());
}

#[test]
fn init_request_rejects_interior_nul() {
    let rt = Runtime::new();
    let r = jit::init_request(&rt, "ro\0ot", None);
    assert_eq!(r.unwrap_err(), CallError::Marshal(MarshalError::InteriorNul));
}

#[test]
fn init_absorbs_root_domain_once() {
    let mut rt = Runtime::new();
    let root = jit::init(&mut rt, 0x1000).unwrap();
    assert!(rt.is_running());
    assert_eq!(root.get_ptr(), 0x1000);
    assert_eq!(root.token_exec().index, 0);

    // A second startup is refused for the rest of the process.
    let again = jit::init(&mut rt, 0x2000);
    assert_eq!(again.unwrap_err(), CallError::AlreadyStarted);
    let req = jit::init_request(&rt, "root", None);
    assert_eq!(req.unwrap_err(), CallError::AlreadyStarted);
}

#[test]
fn init_with_null_root_is_fatal() {
    let mut rt = Runtime::new();
    let r = jit::init(&mut rt, 0);
    assert_eq!(r.unwrap_err(), CallError::ForeignContract);
    // The runtime cannot be started a second time in the same process.
    let r = jit::init(&mut rt, 0x1000);
    assert_eq!(r.unwrap_err(), CallError::ShutDown);
}

#[test]
fn created_domains_get_fresh_tokens() {
    let mut rt = Runtime::new();
    let _root = jit::init(&mut rt, 0x1000).unwrap();
    let d1 = Domain::create(&mut rt, 0x2000).unwrap();
    let d2 = Domain::create(&mut rt, 0x3000).unwrap();
    assert_eq!(d1.token_exec().index, 1);
    assert_eq!(d2.token_exec().index, 2);
    assert!(rt.token_live(d1.token_exec()));
    assert!(rt.token_live(d2.token_exec()));
}

#[test]
fn create_before_init_is_refused() {
    let mut rt = Runtime::new();
    let r = Domain::create(&mut rt, 0x2000);
    assert_eq!(r.unwrap_err(), CallError::NotStarted);
}

#[test]
fn create_with_null_pointer_breaks_foreign_contract() {
    let mut rt = Runtime::new();
    let _root = jit::init(&mut rt, 0x1000).unwrap();
    let r = Domain::create(&mut rt, 0);
    assert_eq!(r.unwrap_err(), CallError::ForeignContract);
}

#[test]
fn assembly_open_marshals_path() {
    let mut rt = Runtime::new();
    let root = jit::init(&mut rt, 0x1000).unwrap();
    let call = root.assembly_open(&rt, "Pinvoke.dll").unwrap();
    assert_eq!(call.domain_ptr, 0x1000);
    assert_eq!(call.path, b"Pinvoke.dll\0".to_vec());
    // Absence when the runtime could not load the file.
    assert!(Assembly::from_ptr(0, root.token_exec()).is_none());
    let assembly = Assembly::from_ptr(0x4000, root.token_exec()).unwrap();
    assert_eq!(assembly.get_ptr(), 0x4000);
}

#[test]
fn set_config_marshals_both_strings() {
    let mut rt = Runtime::new();
    let root = jit::init(&mut rt, 0x1000).unwrap();
    let call = root.set_config(&rt, "base", "app.config").unwrap();
    assert_eq!(call.domain_ptr, 0x1000);
    assert_eq!(call.base_directory, b"base\0".to_vec());
    assert_eq!(call.filename, b"app.config\0".to_vec());
}

#[test]
fn freed_domain_rejects_every_later_use() {
    let mut rt = Runtime::new();
    let _root = jit::init(&mut rt, 0x1000).unwrap();
    let d = Domain::create(&mut rt, 0x2000).unwrap();
    let call = d.free(&mut rt, false).unwrap();
    assert_eq!(call.domain_ptr, 0x2000);
    assert!(!call.force);
    assert!(!rt.token_live(d.token_exec()));
    // Handles acquired under the freed domain are rejected.
    let r = d.assembly_open(&rt, "Pinvoke.dll");
    assert_eq!(r.unwrap_err(), CallError::UseAfterFree);
    let r = d.free(&mut rt, false);
    assert_eq!(r.unwrap_err(), CallError::UseAfterFree);
    // A token made up for the same slot is rejected too.
    assert!(!rt.token_live(DomainToken { index: d.token_exec().index }));
}

#[test]
fn root_domain_needs_force_to_be_freed() {
    let mut rt = Runtime::new();
    let root = jit::init(&mut rt, 0x1000).unwrap();
    let r = root.free(&mut rt, false);
    assert_eq!(r.unwrap_err(), CallError::InvalidOperation);
    let call = root.free(&mut rt, true).unwrap();
    assert!(call.force);
}

#[test]
fn exec_builds_a_process_style_argument_vector() {
    let mut rt = Runtime::new();
    let root = jit::init(&mut rt, 0x1000).unwrap();
    let assembly = Assembly::from_ptr(0x4000, root.token_exec()).unwrap();
    let args = vec![
        "one".to_string(),
        "two".to_string(),
        "three".to_string(),
        "four".to_string(),
    ];
    let call = jit::exec(&rt, &root, &assembly, &args).unwrap();
    assert_eq!(call.domain_ptr, 0x1000);
    assert_eq!(call.assembly_ptr, 0x4000);
    assert_eq!(call.argc, 4);
    assert_eq!(call.argv.len(), 4);
    assert_eq!(call.argv[0], b"one\0".to_vec());
    assert_eq!(call.argv[3], b"four\0".to_vec());
}

#[test]
fn exec_rejects_an_argument_with_interior_nul() {
    let mut rt = Runtime::new();
    let root = jit::init(&mut rt, 0x1000).unwrap();
    let assembly = Assembly::from_ptr(0x4000, root.token_exec()).unwrap();
    let args = vec!["o\0ne".to_string()];
    let r = jit::exec(&rt, &root, &assembly, &args);
    assert_eq!(r.unwrap_err(), CallError::Marshal(MarshalError::InteriorNul));
}

#[test]
fn cleanup_shuts_the_runtime_down_for_good() {
    let mut rt = Runtime::new();
    let root = jit::init(&mut rt, 0x1000).unwrap();
    let d = Domain::create(&mut rt, 0x2000).unwrap();
    let call = jit::cleanup(&mut rt, &root).unwrap();
    assert_eq!(call.domain_ptr, 0x1000);
    assert!(!rt.is_running());
    // Every domain is dead and every operation is refused from here on.
    assert!(!rt.token_live(root.token_exec()));
    assert!(!rt.token_live(d.token_exec()));
    assert_eq!(
        d.assembly_open(&rt, "Pinvoke.dll").unwrap_err(),
        CallError::ShutDown
    );
    assert_eq!(
        Domain::create(&mut rt, 0x5000).unwrap_err(),
        CallError::ShutDown
    );
    assert_eq!(jit::cleanup(&mut rt, &root).unwrap_err(), CallError::ShutDown);
}

#[test]
fn cleanup_needs_the_live_root_domain() {
    let mut rt = Runtime::new();
    let root = jit::init(&mut rt, 0x1000).unwrap();
    let d = Domain::create(&mut rt, 0x2000).unwrap();
    assert_eq!(
        jit::cleanup(&mut rt, &d).unwrap_err(),
        CallError::InvalidOperation
    );
    assert!(rt.is_running());
    let _ = root.free(&mut rt, true).unwrap();
    assert_eq!(
        jit::cleanup(&mut rt, &root).unwrap_err(),
        CallError::UseAfterFree
    );
}
