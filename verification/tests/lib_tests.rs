use rust_go_ffi::{
    add_numbers_begin, add_numbers_finish, cleanup, decode_version, get_dll_path, get_version,
    initialize, is_dll_available, verify_dll, Candidate, DllContext, DllError, LibraryReport,
    LoadedLibrary, Version,
};

fn loaded_report() -> LibraryReport {
    LibraryReport::Loaded(LoadedLibrary { handle: 1, version_code: 100 })
}

#[test]
fn test_dll_path_resolution() {
    let candidates = vec![
        Candidate { path: "go_lib/go_lib.dll".to_string(), exists: true },
        Candidate { path: "./go_lib.dll".to_string(), exists: false },
    ];
    let path = get_dll_path(&None, &candidates);
    assert!(path.is_some(), "DLL path should be resolvable");
}

#[test]
fn test_dll_availability_check() {
    let candidates = vec![
        Candidate { path: "go_lib/go_lib.dll".to_string(), exists: false },
        Candidate { path: "./go_lib.dll".to_string(), exists: false },
    ];
    let available = is_dll_available(&None, &candidates);
    // This test might fail if DLL isn't present, which is expected
    println!("DLL availability: {}", available);
}

#[test]
fn test_dll_verification() {
    let mut ctx = DllContext::new();
    match verify_dll(&mut ctx, &loaded_report()) {
        Ok(_) => println!("DLL verified successfully"),
        Err(e) => println!(
            "DLL verification failed (expected if DLL not present): {:?}",
            e
        ),
    }
}

#[test]
fn test_add_numbers() {
    let mut ctx = DllContext::new();
    let report = loaded_report();
    match verify_dll(&mut ctx, &report) {
        Ok(_) => match add_numbers_begin(&mut ctx, &report, 5, 3) {
            Ok(args) => {
                // The test stands in for the native library's adder.
                let native_sum = args.x + args.y;
                let (result, _freed) = add_numbers_finish(&mut ctx, native_sum);
                assert_eq!(result, 8, "Addition should work correctly");
            }
            Err(e) => println!(
                "Failed to add numbers (expected in some environments): {:?}",
                e
            ),
        },
        Err(e) => println!(
            "DLL verification failed (expected in some environments): {:?}",
            e
        ),
    }
}

#[test]
fn test_dll_error_display() {
    let error = DllError::NotFound;
    assert_eq!(error.message(), "DLL not found");

    let error = DllError::LoadError("test error".to_string());
    assert_eq!(error.message(), "Failed to load DLL: test error");
}

#[test]
fn test_initialization() {
    let mut ctx = DllContext::new();
    initialize(&mut ctx, Version::new(0, 1, 0), &loaded_report())
        .expect("Initialization should succeed");
    assert!(ctx.initialized);
    assert!(cleanup(&mut ctx).is_some(), "Cleanup should succeed");
}

#[test]
fn test_version_compatibility() {
    let mut ctx = DllContext::new();
    let report = loaded_report();
    // First initialize with correct version to ensure DLL is loaded
    match initialize(&mut ctx, Version::new(0, 1, 0), &report) {
        Ok(_) => {
            assert!(cleanup(&mut ctx).is_some(), "Cleanup should succeed");

            // Then try with incorrect version
            let required_version = Version::new(99, 0, 0);
            let result = initialize(&mut ctx, required_version.clone(), &report);

            match result {
                Ok(_) => panic!("Should fail with version mismatch"),
                Err(DllError::VersionMismatch { expected, found }) => {
                    assert_eq!(expected, required_version);
                    assert_eq!(found, Version::new(0, 1, 0));
                    println!(
                        "Successfully caught version mismatch: expected {}, found {}",
                        expected.to_text(),
                        found.to_text()
                    );
                }
                Err(e) => panic!("Wrong error type: {:?}", e),
            }
        }
        Err(e) => println!(
            "Initialization failed (expected in some environments): {:?}",
            e
        ),
    }
}

#[test]
fn test_get_version() {
    let mut ctx = DllContext::new();
    match get_version(&mut ctx, &loaded_report()) {
        Ok(version) => {
            assert_eq!(version, Version::new(0, 1, 0));
            println!("Current DLL version: {}", version.to_text());
        }
        Err(e) => panic!("Failed to get version: {:?}", e),
    }
}

#[test]
fn test_version_parsing() {
    // The version code the native library reports for version 0.1.0
    let version_num: u64 = 100;
    assert_eq!(version_num, 100); // 0.1.0 = 100

    let version = decode_version(version_num);
    assert_eq!(version.major, 0);
    assert_eq!(version.minor, 1);
    assert_eq!(version.patch, 0);
}
