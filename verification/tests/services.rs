use sbi::legacy::{console_get, console_get_call, console_put};
use sbi::srst::{system_reset, system_reset_call, Reason, Type};
use sbi::time::{set_timer, set_timer_call};
use sbi::{base, hsm, ipi, legacy, rfence, srst, time};
use sbi::{Call, Ret, StandardError};

fn code(c: isize) -> usize {
    c as usize
}

#[test]
fn extension_identifiers_are_the_registered_ones() {
    assert_eq!(base::EID, 0x10);
    assert_eq!(hsm::EID, 0x48534D);
    assert_eq!(ipi::EID, 0x735049);
    assert_eq!(srst::EID, 0x53525354);
    assert_eq!(rfence::EID, 0x52464E43);
    assert_eq!(time::EID, 0x54494D45);
    assert_eq!(legacy::EID_CONSOLE_PUT, 0x1);
    assert_eq!(legacy::EID_CONSOLE_GET, 0x2);
}

#[test]
fn extension_identifiers_differ() {
    let ids = [
        base::EID,
        hsm::EID,
        ipi::EID,
        rfence::EID,
        srst::EID,
        time::EID,
        legacy::EID_CONSOLE_PUT,
        legacy::EID_CONSOLE_GET,
    ];
    for (i, a) in ids.iter().enumerate() {
        for b in &ids[i + 1..] {
            assert_ne!(a, b);
        }
    }
}

#[test]
fn set_timer_passes_the_deadline_by_register_width() {
    let call = set_timer_call(0x1_0000_0001);
    assert_eq!(call.eid, 0x54494D45);
    assert_eq!(call.fid, 0x0);
    if usize::BITS >= 64 {
        assert_eq!(call.args, [0x1_0000_0001u64 as usize, 0, 0, 0, 0, 0]);
    } else {
        assert_eq!(call.args, [0x0000_0001, 0x0000_0001, 0, 0, 0, 0]);
    }
}

#[test]
fn set_timer_passes_a_small_deadline_in_the_first_register() {
    assert_eq!(set_timer_call(0), Call { eid: 0x54494D45, fid: 0, args: [0; 6] });
    assert_eq!(set_timer_call(77), Call { eid: 0x54494D45, fid: 0, args: [77, 0, 0, 0, 0, 0] });
}

#[test]
fn set_timer_reply_carries_no_data() {
    assert_eq!(set_timer(Ret { error: 0, value: 0 }), Ok(()));
    assert_eq!(set_timer(Ret { error: 0, value: 99 }), Ok(()));
}

#[test]
fn set_timer_reply_carries_the_error() {
    assert_eq!(set_timer(Ret { error: code(-1), value: 0 }), Err(StandardError::Failed));
    assert_eq!(set_timer(Ret { error: code(-2), value: 0 }), Err(StandardError::NotSupported));
    assert_eq!(set_timer(Ret { error: code(-3), value: 0 }), Err(StandardError::InvalidParam));
    assert_eq!(set_timer(Ret { error: code(-77), value: 0 }), Err(StandardError::Unknown));
}

#[test]
fn system_reset_passes_type_and_reason() {
    assert_eq!(
        system_reset_call(Type::ColdReboot, Reason::NoReason),
        Call { eid: 0x53525354, fid: 0x0, args: [1, 0, 0, 0, 0, 0] }
    );
    assert_eq!(system_reset_call(Type::Shutdown, Reason::SystemFailure).args, [0, 1, 0, 0, 0, 0]);
    assert_eq!(system_reset_call(Type::WarmReboot, Reason::SystemFailure).args, [2, 1, 0, 0, 0, 0]);
    assert_eq!(system_reset_call(Type::Shutdown, Reason::NoReason).args, [0; 6]);
}

#[test]
fn reset_type_and_reason_convert_to_their_words() {
    assert_eq!(usize::from(Type::Shutdown), 0);
    assert_eq!(usize::from(Type::ColdReboot), 1);
    assert_eq!(usize::from(Type::WarmReboot), 2);
    assert_eq!(usize::from(Reason::NoReason), 0);
    assert_eq!(usize::from(Reason::SystemFailure), 1);
}

#[test]
fn a_reset_that_returns_is_an_error() {
    assert_eq!(system_reset(Ret { error: 0, value: 0 }), Err(StandardError::Failed));
    assert_eq!(system_reset(Ret { error: 0, value: 5 }), Err(StandardError::Failed));
    assert!(system_reset(Ret { error: 0, value: 0 }).is_err());
}

#[test]
fn a_reset_that_fails_gives_its_error() {
    assert_eq!(system_reset(Ret { error: code(-1), value: 0 }), Err(StandardError::Failed));
    assert_eq!(system_reset(Ret { error: code(-2), value: 0 }), Err(StandardError::NotSupported));
    assert_eq!(system_reset(Ret { error: code(-3), value: 0 }), Err(StandardError::InvalidParam));
    assert_eq!(system_reset(Ret { error: code(-4), value: 0 }), Err(StandardError::Denied));
    assert_eq!(system_reset(Ret { error: 3, value: 0 }), Err(StandardError::Unknown));
}

#[test]
fn console_put_passes_the_byte() {
    assert_eq!(console_put(b'A'), Call { eid: 0x1, fid: 0x0, args: [65, 0, 0, 0, 0, 0] });
    assert_eq!(console_put(0), Call { eid: 0x1, fid: 0x0, args: [0; 6] });
    assert_eq!(console_put(255).args[0], 255);
}

#[test]
fn console_get_call_passes_nothing() {
    assert_eq!(console_get_call(), Call { eid: 0x2, fid: 0x0, args: [0; 6] });
}

#[test]
fn console_get_reads_a_byte() {
    assert_eq!(console_get(Ret { error: 0, value: 0 }), Some(0));
    assert_eq!(console_get(Ret { error: 0, value: 0x41 }), Some(0x41));
    assert_eq!(console_get(Ret { error: 0, value: 255 }), Some(255));
}

#[test]
fn console_get_reads_nothing_from_more_than_a_byte() {
    assert_eq!(console_get(Ret { error: 0, value: 256 }), None);
    assert_eq!(console_get(Ret { error: 0, value: 257 }), None);
    assert_eq!(console_get(Ret { error: 0, value: code(-1) }), None);
}

#[test]
fn console_get_goes_by_the_value_alone() {
    assert_eq!(console_get(Ret { error: code(-1), value: 7 }), Some(7));
    assert_eq!(console_get(Ret { error: code(-1), value: 256 }), None);
}
