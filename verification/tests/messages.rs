use ryzenadj::raw::{RYZENADJ_MAJOR_VER, RYZENADJ_MINIOR_VER, RYZENADJ_REVISION_VER};
use ryzenadj::{version, RyzenAccess, RyzenAdjErr, RyzenAdjVersion};

#[test]
fn wrapper_works() {
    let access = RyzenAccess::new();
    println!("{}", version().to_string());
    drop(access);
}

#[test]
fn version_is_the_triple_of_the_native_header() {
    let v = version();
    assert_eq!(v.major, RYZENADJ_MAJOR_VER);
    assert_eq!(v.minor, RYZENADJ_MINIOR_VER);
    assert_eq!(v.revision, RYZENADJ_REVISION_VER);
    assert_eq!(
        v,
        RyzenAdjVersion {
            major: RYZENADJ_MAJOR_VER,
            minor: RYZENADJ_MINIOR_VER,
            revision: RYZENADJ_REVISION_VER
        }
    );
}

#[test]
fn version_is_a_constant() {
    assert_eq!(version(), version());
    let copy = version();
    let again = copy;
    assert_eq!(copy, again);
}

#[test]
fn version_text() {
    assert_eq!(
        version().to_string(),
        format!(
            "RyzenAdj v{}.{}.{}",
            RYZENADJ_MAJOR_VER, RYZENADJ_MINIOR_VER, RYZENADJ_REVISION_VER
        )
    );
    let v = RyzenAdjVersion { major: 1, minor: 20, revision: 305 };
    assert_eq!(v.to_string(), "RyzenAdj v1.20.305");
    let v = RyzenAdjVersion { major: 0, minor: 0, revision: 0 };
    assert_eq!(v.to_string(), "RyzenAdj v0.0.0");
    let v = RyzenAdjVersion { major: u32::MAX, minor: 10, revision: 4_000_000_000 };
    assert_eq!(v.to_string(), "RyzenAdj v4294967295.10.4000000000");
    let v = RyzenAdjVersion { major: 9, minor: 99, revision: 100 };
    assert_eq!(v.to_string(), "RyzenAdj v9.99.100");
}

#[test]
fn messages_without_a_code() {
    assert_eq!(RyzenAdjErr::Init.to_string(), "Init error");
    assert_eq!(RyzenAdjErr::NaN.to_string(), "NaN returned");
    assert_eq!(RyzenAdjErr::FamilyUnsupported.to_string(), "CPU Family unsupported");
    assert_eq!(RyzenAdjErr::SmuTimeout.to_string(), "SMU timeout");
    assert_eq!(RyzenAdjErr::SmuUnsupported.to_string(), "SMU unsupported");
    assert_eq!(RyzenAdjErr::SmuRejected.to_string(), "SMU rejected");
    assert_eq!(RyzenAdjErr::MemoryAccess.to_string(), "Memory access error");
}

#[test]
fn messages_with_a_code() {
    assert_eq!(RyzenAdjErr::Table(42).to_string(), "Table init error 42");
    assert_eq!(RyzenAdjErr::Table(-1).to_string(), "Table init error -1");
    assert_eq!(RyzenAdjErr::UnknownFamily(25).to_string(), "Unknown CPU family 25");
    assert_eq!(RyzenAdjErr::UnknownFamily(-3).to_string(), "Unknown CPU family -3");
    assert_eq!(RyzenAdjErr::Unknown(7).to_string(), "Unknown error 7");
    assert_eq!(RyzenAdjErr::Unknown(0).to_string(), "Unknown error 0");
    assert_eq!(RyzenAdjErr::Unknown(-10).to_string(), "Unknown error -10");
    assert_eq!(RyzenAdjErr::Unknown(i32::MAX).to_string(), "Unknown error 2147483647");
    assert_eq!(RyzenAdjErr::Unknown(i32::MIN).to_string(), "Unknown error -2147483648");
}

#[test]
fn codes_are_written_as_the_standard_library_writes_them() {
    let codes = vec![
        0, 1, 9, 10, 11, 99, 100, 101, 909, 1000, 12345, 1_000_000_007, i32::MAX, -1, -9, -10,
        -99, -100, -2020, -1_000_000, i32::MIN, i32::MIN + 1,
    ];
    for code in codes {
        assert_eq!(RyzenAdjErr::Table(code).to_string(), format!("Table init error {}", code));
        assert_eq!(
            RyzenAdjErr::UnknownFamily(code).to_string(),
            format!("Unknown CPU family {}", code)
        );
        assert_eq!(RyzenAdjErr::Unknown(code).to_string(), format!("Unknown error {}", code));
    }
}

#[test]
fn version_numbers_are_written_as_the_standard_library_writes_them() {
    let numbers = vec![0u32, 5, 10, 19, 20, 100, 999, 1000, 65535, 65536, 123_456_789, u32::MAX];
    for n in numbers {
        let v = RyzenAdjVersion { major: n, minor: n / 2, revision: n / 10 };
        assert_eq!(v.to_string(), format!("RyzenAdj v{}.{}.{}", n, n / 2, n / 10));
    }
}

#[test]
fn message_of_a_classified_code() {
    let outcome = RyzenAdjErr::from_set_code(-2);
    assert_eq!(outcome.unwrap_err().to_string(), "SMU timeout");
    let outcome = RyzenAdjErr::from_set_code(-77);
    assert_eq!(outcome.unwrap_err().to_string(), "Unknown error -77");
}
