use ryzenadj::raw::{
    ADJ_ERR_FAM_UNSUPPORTED, ADJ_ERR_MEMORY_ACCESS, ADJ_ERR_SMU_REJECTED, ADJ_ERR_SMU_TIMEOUT,
    ADJ_ERR_SMU_UNSUPPORTED, ADJ_OK,
};
use ryzenadj::RyzenAdjErr;

#[test]
fn zero_is_success() {
    assert_eq!(ADJ_OK, 0);
    assert_eq!(RyzenAdjErr::from_set_code(0), Ok(()));
}

#[test]
fn named_codes_have_the_values_of_the_native_header() {
    assert_eq!(ADJ_ERR_FAM_UNSUPPORTED, -1);
    assert_eq!(ADJ_ERR_SMU_TIMEOUT, -2);
    assert_eq!(ADJ_ERR_SMU_UNSUPPORTED, -3);
    assert_eq!(ADJ_ERR_SMU_REJECTED, -4);
    assert_eq!(ADJ_ERR_MEMORY_ACCESS, -5);
}

#[test]
fn named_codes_give_their_own_failure() {
    assert_eq!(
        RyzenAdjErr::from_set_code(ADJ_ERR_FAM_UNSUPPORTED),
        Err(RyzenAdjErr::FamilyUnsupported)
    );
    assert_eq!(
        RyzenAdjErr::from_set_code(ADJ_ERR_SMU_TIMEOUT),
        Err(RyzenAdjErr::SmuTimeout)
    );
    assert_eq!(
        RyzenAdjErr::from_set_code(ADJ_ERR_SMU_UNSUPPORTED),
        Err(RyzenAdjErr::SmuUnsupported)
    );
    assert_eq!(
        RyzenAdjErr::from_set_code(ADJ_ERR_SMU_REJECTED),
        Err(RyzenAdjErr::SmuRejected)
    );
    assert_eq!(
        RyzenAdjErr::from_set_code(ADJ_ERR_MEMORY_ACCESS),
        Err(RyzenAdjErr::MemoryAccess)
    );
}

#[test]
fn named_codes_by_number() {
    assert_eq!(RyzenAdjErr::from_set_code(-1), Err(RyzenAdjErr::FamilyUnsupported));
    assert_eq!(RyzenAdjErr::from_set_code(-2), Err(RyzenAdjErr::SmuTimeout));
    assert_eq!(RyzenAdjErr::from_set_code(-3), Err(RyzenAdjErr::SmuUnsupported));
    assert_eq!(RyzenAdjErr::from_set_code(-4), Err(RyzenAdjErr::SmuRejected));
    assert_eq!(RyzenAdjErr::from_set_code(-5), Err(RyzenAdjErr::MemoryAccess));
}

#[test]
fn other_codes_are_kept_verbatim() {
    let codes = vec![1, 2, 5, 42, -6, -7, -100, 255, 65536, i32::MAX, i32::MIN, i32::MIN + 1];
    for code in codes {
        assert_eq!(RyzenAdjErr::from_set_code(code), Err(RyzenAdjErr::Unknown(code)));
    }
}

#[test]
fn success_if_and_only_if_zero() {
    let mut code: i32 = -3000;
    while code <= 3000 {
        assert_eq!(RyzenAdjErr::from_set_code(code).is_ok(), code == 0);
        code += 1;
    }
    assert!(RyzenAdjErr::from_set_code(i32::MAX).is_err());
    assert!(RyzenAdjErr::from_set_code(i32::MIN).is_err());
}

#[test]
fn every_code_near_zero_has_exactly_the_documented_outcome() {
    let mut code: i32 = -20;
    while code <= 20 {
        let expected = match code {
            0 => Ok(()),
            -1 => Err(RyzenAdjErr::FamilyUnsupported),
            -2 => Err(RyzenAdjErr::SmuTimeout),
            -3 => Err(RyzenAdjErr::SmuUnsupported),
            -4 => Err(RyzenAdjErr::SmuRejected),
            -5 => Err(RyzenAdjErr::MemoryAccess),
            other => Err(RyzenAdjErr::Unknown(other)),
        };
        assert_eq!(RyzenAdjErr::from_set_code(code), expected);
        code += 1;
    }
}

#[test]
fn classifier_never_gives_the_reserved_or_construction_failures() {
    let mut code: i32 = -200;
    while code <= 200 {
        let outcome = RyzenAdjErr::from_set_code(code);
        assert!(!matches!(
            outcome,
            Err(RyzenAdjErr::Init)
                | Err(RyzenAdjErr::Table(_))
                | Err(RyzenAdjErr::NaN)
                | Err(RyzenAdjErr::UnknownFamily(_))
        ));
        code += 1;
    }
}
