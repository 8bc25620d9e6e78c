use altdss::context::{activation_outcome, BufferKind, BufferLocation, ContextKind, DSSContext, Registration};
use altdss::error::{DSSError, ErrorKind};
use altdss::wire::bool_to_u16;

fn registration() -> Registration {
    Registration {
        error_number: 0x10,
        float64: BufferLocation { count: 0x20, data: 0x28 },
        int32: BufferLocation { count: 0x30, data: 0x38 },
        int8: BufferLocation { count: 0x40, data: 0x48 },
        text: BufferLocation { count: 0x50, data: 0x58 },
    }
}

#[test]
fn null_token_is_context_creation_error() {
    let e = DSSContext::new(0, registration()).err().unwrap();
    assert_eq!(e.kind, ErrorKind::ContextCreation);
    assert_eq!(e.message, "Could not create a new DSS Context");
    assert_eq!(e.number, 0);
    let e = DSSContext::prime(0, registration()).err().unwrap();
    assert_eq!(e.kind, ErrorKind::ContextCreation);
}

#[test]
fn incomplete_registration_is_context_creation_error() {
    let mut r = registration();
    r.int8.data = 0;
    let e = DSSContext::new(0x1234, r).err().unwrap();
    assert_eq!((e.kind, e.number), (ErrorKind::ContextCreation, 0));
    assert_eq!(e.message, "Could not register the DSS Context");
    let mut r = registration();
    r.error_number = 0;
    assert_eq!(DSSContext::new(0x1234, r).err().unwrap().kind, ErrorKind::ContextCreation);
}

#[test]
fn registered_addresses_are_kept() {
    let c = DSSContext::new(0x1234, registration()).ok().unwrap();
    assert_eq!(c.ctx_ptr(), 0x1234);
    assert!(!c.is_prime());
    assert_eq!(c.error_number_addr(), 0x10);
    assert_eq!(c.buffer(BufferKind::Float64), BufferLocation { count: 0x20, data: 0x28 });
    assert_eq!(c.buffer(BufferKind::Int32), BufferLocation { count: 0x30, data: 0x38 });
    assert_eq!(c.buffer(BufferKind::Int8), BufferLocation { count: 0x40, data: 0x48 });
    assert_eq!(c.buffer(BufferKind::Text), BufferLocation { count: 0x50, data: 0x58 });
}

#[test]
fn actor_disposed_once_only() {
    let mut c = DSSContext::new(0x1234, registration()).ok().unwrap();
    assert!(c.ensure_active().is_ok());
    assert!(c.dispose().is_ok());
    let e = c.dispose().unwrap_err();
    assert_eq!(e.kind, ErrorKind::Lifecycle);
    assert_eq!(c.ensure_active().unwrap_err().kind, ErrorKind::Lifecycle);
}

#[test]
fn prime_is_never_disposed() {
    let mut p = DSSContext::prime(0x9999, registration()).ok().unwrap();
    assert!(p.is_prime());
    assert_eq!(p.dispose().unwrap_err().kind, ErrorKind::Lifecycle);
    assert_eq!(p.dispose().unwrap_err().kind, ErrorKind::Lifecycle);
    assert!(p.ensure_active().is_ok());
    assert_ne!(ContextKind::Prime, ContextKind::Actor);
}

#[test]
fn error_flag_is_consumed_once() {
    let c = DSSContext::new(0x1234, registration()).ok().unwrap();
    let mut flag: i32 = 0;
    assert!(c.DSSError(&mut flag, String::new()).is_ok());
    flag = 302;
    let e = c.DSSError(&mut flag, "No active circuit.".to_string()).unwrap_err();
    assert_eq!(e.kind, ErrorKind::Engine);
    assert_eq!(e.number, 302);
    assert_eq!(e.message, "No active circuit.");
    assert_eq!(flag, 0);
    assert!(c.DSSError(&mut flag, String::new()).is_ok());
}

#[test]
fn error_flag_of_disposed_handle_is_untouched() {
    let mut c = DSSContext::new(0x1234, registration()).ok().unwrap();
    c.dispose().unwrap();
    let mut flag: i32 = 7;
    let e = c.DSSError(&mut flag, String::new()).unwrap_err();
    assert_eq!(e.kind, ErrorKind::Lifecycle);
    assert_eq!(flag, 7);
}

#[test]
fn activation_status_and_flag_combine() {
    assert!(activation_outcome(0, Ok(())).is_ok());
    let e = activation_outcome(-1, Ok(())).unwrap_err();
    assert_eq!(e.kind, ErrorKind::Engine);
    assert_eq!(e.number, 0);
    assert_eq!(e.message, "Could not activate bus");
    let e = activation_outcome(-1, Err(DSSError::engine(5, "bad bus".to_string()))).unwrap_err();
    assert_eq!((e.number, e.message.as_str()), (5, "bad bus"));
    let e = activation_outcome(3, Err(DSSError::engine(8, "late".to_string()))).unwrap_err();
    assert_eq!(e.number, 8);
}

#[test]
fn booleans_cross_as_zero_or_one() {
    assert_eq!(bool_to_u16(true), 1);
    assert_eq!(bool_to_u16(false), 0);
}
