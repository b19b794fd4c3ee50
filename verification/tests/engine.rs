use ip_intelligence::bindings::{fiftyoneDegreesException, fiftyoneDegreesResourceManager};
use ip_intelligence::calls::InitCall;
use ip_intelligence::config::{CallingConvention, ConfigBinding, Profile};
use ip_intelligence::engine::IpiEngine;
use ip_intelligence::error::{EncodingError, InitError};
use ip_intelligence::results::IpiResults;

fn active_manager() -> fiftyoneDegreesResourceManager {
    fiftyoneDegreesResourceManager { active: 0x7f00_1000 }
}

#[test]
fn prepare_native_low_memory_uses_the_helper() {
    let call = IpiEngine::prepare(
        "assets/51Degrees-EnterpriseIpiV41.ipi",
        Profile::LowMemory,
        CallingConvention::Native,
    );
    let mut path = b"assets/51Degrees-EnterpriseIpiV41.ipi".to_vec();
    path.push(0);
    assert_eq!(
        call,
        Ok(InitCall::Helper { manager: fiftyoneDegreesResourceManager { active: 0 }, path })
    );
}

#[test]
fn prepare_native_with_another_profile_passes_a_local_copy() {
    for profile in [Profile::InMemory, Profile::Balanced] {
        let call = IpiEngine::prepare("/data/x.ipi", profile, CallingConvention::Native);
        assert_eq!(
            call,
            Ok(InitCall::Direct {
                manager: fiftyoneDegreesResourceManager { active: 0 },
                config: ConfigBinding::LocalCopy(profile),
                properties: None,
                path: b"/data/x.ipi\0".to_vec(),
                exception: fiftyoneDegreesException { status: 26, message: 0, file: 0, line: 0 },
            })
        );
    }
}

#[test]
fn prepare_constrained_low_memory_lends_the_global() {
    let call = IpiEngine::prepare("/data/x.ipi", Profile::LowMemory, CallingConvention::Constrained);
    assert_eq!(
        call,
        Ok(InitCall::Direct {
            manager: fiftyoneDegreesResourceManager { active: 0 },
            config: ConfigBinding::GlobalAddress(Profile::LowMemory),
            properties: None,
            path: b"/data/x.ipi\0".to_vec(),
            exception: fiftyoneDegreesException { status: 26, message: 0, file: 0, line: 0 },
        })
    );
}

#[test]
fn prepare_constrained_lends_the_global_and_a_blank_exception() {
    let call = IpiEngine::prepare("/data/x.ipi", Profile::Balanced, CallingConvention::Constrained);
    assert_eq!(
        call,
        Ok(InitCall::Direct {
            manager: fiftyoneDegreesResourceManager { active: 0 },
            config: ConfigBinding::GlobalAddress(Profile::Balanced),
            properties: None,
            path: b"/data/x.ipi\0".to_vec(),
            exception: fiftyoneDegreesException { status: 26, message: 0, file: 0, line: 0 },
        })
    );
}

#[test]
fn prepare_rejects_a_path_with_a_zero_byte() {
    assert_eq!(
        IpiEngine::prepare("data\0.ipi", Profile::LowMemory, CallingConvention::Native),
        Err(EncodingError { position: 4 })
    );
    assert_eq!(
        IpiEngine::prepare("data\0.ipi", Profile::LowMemory, CallingConvention::Constrained),
        Err(EncodingError { position: 4 })
    );
}

#[test]
fn new_with_success_status_owns_the_manager() {
    let engine = IpiEngine::new(active_manager(), 0).unwrap();
    assert_eq!(*engine.get_manager(), active_manager());
}

#[test]
fn new_with_failure_status_wraps_it_verbatim() {
    let failed = IpiEngine::new(fiftyoneDegreesResourceManager::zeroed(), 10);
    assert_eq!(failed.err(), Some(InitError { status_code: 10 }));
    let negative = IpiEngine::new(fiftyoneDegreesResourceManager::zeroed(), -1);
    assert_eq!(negative.err(), Some(InitError { status_code: -1 }));
}

#[test]
fn missing_file_never_yields_a_handle() {
    let call = IpiEngine::prepare("/no/such/file.ipi", Profile::LowMemory, CallingConvention::Native);
    assert!(call.is_ok());
    // The engine reports a missing file through its status.
    let outcome = IpiEngine::new(fiftyoneDegreesResourceManager::zeroed(), 5);
    assert!(matches!(outcome, Err(InitError { status_code: 5 })));
}

#[test]
fn fresh_engine_releases_its_manager() {
    let engine = IpiEngine::new(active_manager(), 0).unwrap();
    assert_eq!(engine.release(), active_manager());
}

#[test]
fn results_read_from_their_engine() {
    let engine = IpiEngine::new(active_manager(), 0).unwrap();
    let results = IpiResults::new(&engine, 0x100);
    assert_eq!(*results.engine().get_manager(), active_manager());
    assert_eq!(results.release(), 0x100);
    assert_eq!(engine.release(), active_manager());
}

#[test]
fn results_of_two_engines_keep_apart() {
    let first = IpiEngine::new(fiftyoneDegreesResourceManager { active: 0x1000 }, 0).unwrap();
    let second = IpiEngine::new(fiftyoneDegreesResourceManager { active: 0x2000 }, 0).unwrap();
    let a = IpiResults::new(&first, 0x10);
    let b = IpiResults::new(&second, 0x20);
    assert_eq!(a.engine().get_manager().active, 0x1000);
    assert_eq!(b.engine().get_manager().active, 0x2000);
    assert_eq!(a.release(), 0x10);
    assert_eq!(first.release().active, 0x1000);
    assert_eq!(b.release(), 0x20);
    assert_eq!(second.release().active, 0x2000);
}

#[test]
fn results_may_be_released_in_creation_order() {
    let engine = IpiEngine::new(active_manager(), 0).unwrap();
    let a = IpiResults::new(&engine, 0x10);
    let b = IpiResults::new(&engine, 0x20);
    let c = IpiResults::new(&engine, 0x30);
    assert_eq!(a.release(), 0x10);
    assert_eq!(b.release(), 0x20);
    assert_eq!(c.release(), 0x30);
    assert_eq!(engine.release(), active_manager());
}

#[test]
fn results_may_be_released_in_reverse_order() {
    let engine = IpiEngine::new(active_manager(), 0).unwrap();
    let a = IpiResults::new(&engine, 0x10);
    let b = IpiResults::new(&engine, 0x20);
    let c = IpiResults::new(&engine, 0x30);
    assert_eq!(c.release(), 0x30);
    assert_eq!(b.release(), 0x20);
    assert_eq!(a.release(), 0x10);
    assert_eq!(engine.release(), active_manager());
}

#[test]
fn results_may_be_released_between_creations() {
    let engine = IpiEngine::new(active_manager(), 0).unwrap();
    let a = IpiResults::new(&engine, 0x10);
    let b = IpiResults::new(&engine, 0x20);
    assert_eq!(a.release(), 0x10);
    let c = IpiResults::new(&engine, 0x30);
    assert_eq!(c.release(), 0x30);
    assert_eq!(b.release(), 0x20);
    assert_eq!(engine.release(), active_manager());
}

#[test]
fn engine_without_results_releases_at_once() {
    let engine = IpiEngine::new(fiftyoneDegreesResourceManager { active: 0x9000 }, 0).unwrap();
    assert_eq!(engine.release(), fiftyoneDegreesResourceManager { active: 0x9000 });
}
