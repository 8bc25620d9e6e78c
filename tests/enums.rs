use altdss::enums::{
    decode_enum, decode_enum_array, encode_enum_array, ControlModes, CoreType, EngineEnum, LineUnits,
    SolveModes, SparseSolverOptions,
};
use altdss::context::{BufferLocation, DSSContext, Registration};
use altdss::error::ErrorKind;

fn active() -> DSSContext {
    let loc = BufferLocation { count: 0x20, data: 0x28 };
    let reg = Registration { error_number: 0x10, float64: loc, int32: loc, int8: loc, text: loc };
    DSSContext::new(0x1234, reg).ok().unwrap()
}

#[test]
fn core_type_out_of_range_is_refused() {
    for raw in [2, 6, 7, 8, 10, -1, i32::MAX] {
        let e = decode_enum::<CoreType>(raw).unwrap_err();
        assert_eq!(e.kind, ErrorKind::Marshaling);
    }
}

#[test]
fn core_type_known_codes_decode() {
    assert_eq!(decode_enum::<CoreType>(0).unwrap(), CoreType::shell);
    assert_eq!(decode_enum::<CoreType>(3).unwrap(), CoreType::three_leg);
    assert_eq!(decode_enum::<CoreType>(9).unwrap(), CoreType::core_1_phase);
}

#[test]
fn enum_codes_round_trip() {
    for m in [ControlModes::Static, ControlModes::Event, ControlModes::Time, ControlModes::Multirate, ControlModes::Off] {
        assert_eq!(ControlModes::from_code(m.code()), Some(m));
    }
    assert_eq!(ControlModes::Off.code(), -1);
    assert_eq!(SolveModes::Daily.code(), 1);
    assert_eq!(SolveModes::from_code(17), Some(SolveModes::HarmonicT));
    assert_eq!(SolveModes::from_code(18), None);
    assert_eq!(SparseSolverOptions::AlwaysResetYPrimInvalid.code(), 268435456);
    assert_eq!(SparseSolverOptions::from_code(4), None);
}

#[test]
fn enum_array_decodes_or_refuses_whole() {
    let v = decode_enum_array::<LineUnits>(&[0, 3, 8]).unwrap();
    assert_eq!(v, vec![LineUnits::none, LineUnits::km, LineUnits::mm]);
    let e = decode_enum_array::<LineUnits>(&[1, 9, 2]).unwrap_err();
    assert_eq!(e.kind, ErrorKind::Marshaling);
    assert!(decode_enum_array::<LineUnits>(&[]).unwrap().is_empty());
}

#[test]
fn enum_array_encodes_in_order() {
    assert_eq!(encode_enum_array(&[LineUnits::ft, LineUnits::Miles, LineUnits::inch]), vec![5, 1, 6]);
}

#[test]
fn enum_scalar_checks_flag_first() {
    let c = active();
    let mut flag: i32 = 11;
    let e = c.GetEnum::<CoreType>(&mut flag, "no transformer".to_string(), 3).unwrap_err();
    assert_eq!((e.kind, e.number), (ErrorKind::Engine, 11));
    assert_eq!(flag, 0);
    assert_eq!(c.GetEnum::<CoreType>(&mut flag, String::new(), 3).unwrap(), CoreType::three_leg);
    assert_eq!(c.GetEnum::<CoreType>(&mut flag, String::new(), 2).unwrap_err().kind, ErrorKind::Marshaling);
}

#[test]
fn enum_buffer_checks_then_decodes() {
    let c = active();
    let mut flag: i32 = 0;
    let raw = vec![2, 4, 7];
    let v = c.GetEnumArrayGR::<LineUnits, _>(&mut flag, String::new(), 3, 0x5000, |n| &raw[..n]).unwrap();
    assert_eq!(v, vec![LineUnits::kFt, LineUnits::meter, LineUnits::cm]);
    let bad = vec![2, 40];
    let e = c.GetEnumArrayGR::<LineUnits, _>(&mut flag, String::new(), 2, 0x5000, |n| &bad[..n]).unwrap_err();
    assert_eq!(e.kind, ErrorKind::Marshaling);
    flag = 4;
    let e = c.GetEnumArrayGR::<LineUnits, _>(&mut flag, String::new(), 3, 0x5000, |n| &raw[..n]).unwrap_err();
    assert_eq!((e.kind, e.number, flag), (ErrorKind::Engine, 4, 0));
}
