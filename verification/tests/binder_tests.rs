use tcping::binder::{
    interpret_index_lookup, interpret_socket_call, plan_bind, BindOutcome, BindPlan, PinningStyle,
};
use tcping::resolve::AddressFamily;

#[test]
fn no_interface_means_wildcard_of_the_family() {
    assert_eq!(
        plan_bind(None, AddressFamily::V4, PinningStyle::ByName),
        Ok(BindPlan::WildcardV4)
    );
    assert_eq!(
        plan_bind(None, AddressFamily::V6, PinningStyle::ByIndex),
        Ok(BindPlan::WildcardV6)
    );
    assert_eq!(
        plan_bind(None, AddressFamily::V4, PinningStyle::Unavailable),
        Ok(BindPlan::WildcardV4)
    );
}

#[test]
fn named_interface_is_pinned_with_the_platform_style() {
    let iface = b"eth0".to_vec();
    assert_eq!(
        plan_bind(Some(&iface), AddressFamily::V4, PinningStyle::ByName),
        Ok(BindPlan::PinToName(b"eth0".to_vec()))
    );
    assert_eq!(
        plan_bind(Some(&iface), AddressFamily::V6, PinningStyle::ByIndex),
        Ok(BindPlan::PinToIndex(b"eth0".to_vec()))
    );
}

#[test]
fn named_interface_never_falls_back_silently() {
    let iface = b"en1".to_vec();
    let r = plan_bind(Some(&iface), AddressFamily::V4, PinningStyle::Unavailable);
    assert_eq!(r, Err(BindOutcome::UnsupportedPlatform));
    for style in [PinningStyle::ByIndex, PinningStyle::ByName] {
        match plan_bind(Some(&iface), AddressFamily::V4, style) {
            Ok(BindPlan::WildcardV4) | Ok(BindPlan::WildcardV6) => {
                panic!("a named interface degraded to a wildcard bind")
            }
            _ => {}
        }
    }
}

#[test]
fn unknown_interface_index_is_a_bind_error() {
    assert_eq!(
        interpret_index_lookup(0, 19),
        Err(BindOutcome::BindError(19))
    );
    assert_eq!(interpret_index_lookup(3, 0), Ok(3));
}

#[test]
fn failed_socket_call_is_a_bind_error() {
    assert_eq!(
        interpret_socket_call(-1, 13),
        Err(BindOutcome::BindError(13))
    );
    assert_eq!(interpret_socket_call(0, 0), Ok(()));
}
